//! One side's turn at batting, scored ball by ball.

use vstd::prelude::*;
use vstd::string::StringExecFns;
use crate::scoring::ball::{BallOutcome, BallView, WicketView, wicket_views};
use crate::scoring::player::{
    Player,
    PlayerView,
    Team,
    TeamView,
    named,
    named_in,
    one_player_changed,
    position_named,
    position_named_in,
};
use crate::scoring::bounds::within_i32;
use crate::scoring::search::first_is_first;
use crate::scoring::score::{
    CurrentScore,
    Play,
    ScoreView,
    bat_runs_in,
    penalty_runs_in,
    runs_add_up,
    wickets_make_ten,
};

verus! {

impl PlayerView {
    /// A striker's figures after this delivery: a legal ball counts as faced,
    /// and unless it went for byes or leg byes the runs off the bat and the
    /// boundary are the striker's.
    pub open spec fn after_facing(self, ball: BallView) -> PlayerView {
        if !ball.is_legal() {
            self
        } else if ball.byes is Some || ball.leg_byes is Some {
            PlayerView { balls_faced: self.balls_faced + 1, ..self }
        } else {
            PlayerView {
                balls_faced: self.balls_faced + 1,
                runs: self.runs + ball.runs,
                fours: self.fours + if ball.four {
                    1int
                } else {
                    0int
                },
                sixes: self.sixes + if ball.six {
                    1int
                } else {
                    0int
                },
                ..self
            }
        }
    }

    /// A bowler's figures after this delivery: a legal ball counts as
    /// bowled, every run of the delivery is conceded, off the bat or extra,
    /// every dismissal is a wicket taken, and a wide and a no-ball are counted.
    pub open spec fn after_bowling(self, ball: BallView) -> PlayerView {
        PlayerView {
            balls_bowled: self.balls_bowled + if ball.is_legal() {
                1int
            } else {
                0int
            },
            runs_conceded: self.runs_conceded + ball.total_runs(),
            wickets_taken: self.wickets_taken + ball.dismissals().len(),
            wides: self.wides + if ball.wide is Some {
                1int
            } else {
                0int
            },
            no_balls: self.no_balls + if ball.no_ball is Some {
                1int
            } else {
                0int
            },
            ..self
        }
    }

    /// A batter's record once dismissed in the manner `kind`.
    pub open spec fn dismissed(self, kind: Seq<char>) -> PlayerView {
        PlayerView { out: true, dismissal: Some(kind), ..self }
    }
}

/// The batting roster together with the two positions at the crease.
pub ghost struct Crease {
    pub players: Seq<PlayerView>,
    pub on_strike: int,
    pub off_strike: int,
}

impl Crease {
    /// The two batters with their ends exchanged.
    pub open spec fn crossed(self) -> Crease {
        Crease { on_strike: self.off_strike, off_strike: self.on_strike, ..self }
    }

    /// Roster position of the batter who comes in next.
    pub open spec fn next_in(self) -> int {
        if self.on_strike >= self.off_strike {
            self.on_strike + 1
        } else {
            self.off_strike + 1
        }
    }

    /// The crease after one dismissal: the first player whose name occurs in
    /// the dismissal is out, and the next batter takes the striker's end if
    /// that player was on strike, the other end if not.
    pub open spec fn after_dismissal(self, wicket: WicketView) -> Crease {
        match position_named_in(self.players, wicket.player_out) {
            Some(i) => Crease {
                players: self.players.update(i, self.players[i].dismissed(wicket.kind)),
                on_strike: if i == self.on_strike {
                    self.next_in()
                } else {
                    self.on_strike
                },
                off_strike: if i == self.on_strike {
                    self.off_strike
                } else {
                    self.next_in()
                },
            },
            None => self,
        }
    }

    /// The crease after `wickets`, taken in order.
    pub open spec fn after_dismissals(self, wickets: Seq<WicketView>) -> Crease
        decreases wickets.len(),
    {
        if wickets.len() == 0 {
            self
        } else {
            self.after_dismissals(wickets.drop_last()).after_dismissal(wickets.last())
        }
    }
}

/// Mathematical value of an [`Innings`].
pub ghost struct InningsView {
    pub score: ScoreView,
    pub batting_team: TeamView,
    pub bowling_team: TeamView,
    pub on_strike: int,
    pub off_strike: int,
    pub finished: bool,
}

impl InningsView {
    /// An innings about to begin: the first two of the roster at the crease.
    pub open spec fn start(batting_team: TeamView, bowling_team: TeamView) -> InningsView {
        InningsView {
            score: ScoreView::start(),
            batting_team,
            bowling_team,
            on_strike: 0,
            off_strike: 1,
            finished: false,
        }
    }

    /// The innings once the current over has been called: the batters change ends.
    pub open spec fn after_over(self) -> InningsView {
        InningsView {
            score: self.score.after_over(),
            on_strike: self.off_strike,
            off_strike: self.on_strike,
            ..self
        }
    }

    /// The batting roster and the two positions at the crease.
    pub open spec fn crease(self) -> Crease {
        Crease {
            players: self.batting_team.players,
            on_strike: self.on_strike,
            off_strike: self.off_strike,
        }
    }

    /// Roster position of the striker that `ball` names.
    pub open spec fn striker(self, ball: BallView) -> int {
        position_named(self.batting_team.players, ball.on_strike.name)->0
    }

    /// Roster position of the non-striker that `ball` names.
    pub open spec fn non_striker(self, ball: BallView) -> int {
        position_named(self.batting_team.players, ball.off_strike.name)->0
    }

    /// Roster position of the bowler that `ball` names.
    pub open spec fn bowler(self, ball: BallView) -> int {
        position_named(self.bowling_team.players, ball.bowler.name)->0
    }

    /// The bowler that `ball` names is in the bowling roster.
    pub open spec fn knows_bowler(self, ball: BallView) -> bool {
        position_named(self.bowling_team.players, ball.bowler.name) is Some
    }

    /// Both batters that `ball` names are in the batting roster, and so is a
    /// player for each of its dismissals.
    pub open spec fn knows_batters(self, ball: BallView) -> bool {
        &&& position_named(self.batting_team.players, ball.on_strike.name) is Some
        &&& position_named(self.batting_team.players, ball.off_strike.name) is Some
        &&& forall|k: int|
            0 <= k < ball.dismissals().len() ==> position_named_in(
                self.batting_team.players,
                (#[trigger] ball.dismissals()[k]).player_out,
            ) is Some
    }

    /// The innings can take `ball`: its batters and its bowler are known,
    /// every figure that the delivery changes stays within an `i32`, and the
    /// crease positions stay within a `usize`.
    pub open spec fn can_record(self, ball: BallView) -> bool {
        &&& self.knows_batters(ball)
        &&& self.knows_bowler(ball)
        &&& self.score.after_ball(ball).fits()
        &&& self.batting_team.players[self.striker(ball)].after_facing(ball).fits()
        &&& self.bowling_team.players[self.bowler(ball)].after_bowling(ball).fits()
        &&& self.striker(ball) + ball.dismissals().len() < usize::MAX
        &&& self.non_striker(ball) + ball.dismissals().len() < usize::MAX
    }

    /// The crease as the delivery leaves it before any wicket is dealt with:
    /// the batters that `ball` names, the striker credited, ends exchanged
    /// where an odd number of runs came off the bat.
    pub open spec fn crease_after_runs(self, ball: BallView) -> Crease {
        let striker = self.striker(ball);
        let crease = Crease {
            players: self.batting_team.players.update(
                striker,
                self.batting_team.players[striker].after_facing(ball),
            ),
            on_strike: striker,
            off_strike: self.non_striker(ball),
        };
        if ball.runs % 2 != 0 {
            crease.crossed()
        } else {
            crease
        }
    }

    /// The bowling roster after the delivery: the bowler that `ball` names is
    /// charged with it, and no one else.
    pub open spec fn bowlers_after(self, ball: BallView) -> Seq<PlayerView> {
        self.bowling_team.players.update(
            self.bowler(ball),
            self.bowling_team.players[self.bowler(ball)].after_bowling(ball),
        )
    }

    /// The innings once `ball` has been bowled.
    pub open spec fn after_ball(self, ball: BallView) -> InningsView {
        let crease = self.crease_after_runs(ball).after_dismissals(ball.dismissals());
        InningsView {
            score: self.score.after_ball(ball),
            batting_team: TeamView { players: crease.players, name: self.batting_team.name },
            bowling_team: TeamView {
                players: self.bowlers_after(ball),
                name: self.bowling_team.name,
            },
            on_strike: crease.on_strike,
            off_strike: crease.off_strike,
            finished: self.finished,
        }
    }
}

/// The dismissal of one of the two batters at the crease marks that batter
/// out in the manner recorded, changes no other player, and brings the next
/// batter of the roster in at the end where the dismissed batter stood.
pub proof fn dismissal_brings_in_next_batter(crease: Crease, wicket: WicketView, i: int)
    requires
        position_named_in(crease.players, wicket.player_out) == Some(i),
        i == crease.on_strike || i == crease.off_strike,
    ensures
        0 <= i < crease.players.len(),
        crease.after_dismissal(wicket).players == crease.players.update(
            i,
            crease.players[i].dismissed(wicket.kind),
        ),
        i == crease.on_strike ==> {
            &&& crease.after_dismissal(wicket).on_strike == crease.next_in()
            &&& crease.after_dismissal(wicket).off_strike == crease.off_strike
        },
        i != crease.on_strike ==> {
            &&& crease.after_dismissal(wicket).on_strike == crease.on_strike
            &&& crease.after_dismissal(wicket).off_strike == crease.next_in()
        },
        crease.next_in() > crease.on_strike,
        crease.next_in() > crease.off_strike,
{
    first_is_first(named_in(crease.players, wicket.player_out));
}

/// Whether `after` is `before` with nothing changed but the record of a dismissal.
pub open spec fn differs_by_dismissal(before: PlayerView, after: PlayerView) -> bool {
    after == (PlayerView { out: after.out, dismissal: after.dismissal, ..before })
}

/// Dismissals add no player, change nothing of a player but the record of
/// the dismissal, and bring in at most one batter each.
pub proof fn dismissals_keep_roster(crease: Crease, wickets: Seq<WicketView>)
    ensures
        crease.after_dismissals(wickets).players.len() == crease.players.len(),
        forall|i: int|
            0 <= i < crease.players.len() ==> differs_by_dismissal(
                crease.players[i],
                #[trigger] crease.after_dismissals(wickets).players[i],
            ),
        forall|text: Seq<char>|
            #[trigger] named_in(crease.after_dismissals(wickets).players, text) == named_in(
                crease.players,
                text,
            ),
        crease.after_dismissals(wickets).next_in() <= crease.next_in() + wickets.len(),
    decreases wickets.len(),
{
    if wickets.len() > 0 {
        let earlier = crease.after_dismissals(wickets.drop_last());
        dismissals_keep_roster(crease, wickets.drop_last());
        let later = earlier.after_dismissal(wickets.last());
        match position_named_in(earlier.players, wickets.last().player_out) {
            Some(i) => {
                first_is_first(named_in(earlier.players, wickets.last().player_out));
            },
            None => {},
        }
        assert forall|text: Seq<char>|
            named_in(later.players, text) == named_in(crease.players, text) by {
            assert(named_in(earlier.players, text) == named_in(crease.players, text));
            assert(named_in(later.players, text) =~= named_in(earlier.players, text));
        }
        assert forall|i: int| 0 <= i < crease.players.len() implies differs_by_dismissal(
            crease.players[i],
            #[trigger] later.players[i],
        ) by {
            assert(differs_by_dismissal(crease.players[i], earlier.players[i]));
        }
    }
}

impl InningsView {
    /// The innings after one delivery or one call of "over".
    pub open spec fn after_play(self, play: Play) -> InningsView {
        match play {
            Play::Ball(ball) => self.after_ball(ball),
            Play::Over => self.after_over(),
        }
    }

    /// The innings after a passage of play.
    pub open spec fn after_plays(self, plays: Seq<Play>) -> InningsView
        decreases plays.len(),
    {
        if plays.len() == 0 {
            self
        } else {
            self.after_plays(plays.drop_last()).after_play(plays.last())
        }
    }
}

impl InningsView {
    /// The innings can take `play`: a delivery that it can record, or a call
    /// of "over" that its count of overs can hold.
    pub open spec fn can_play(self, play: Play) -> bool {
        match play {
            Play::Ball(ball) => self.can_record(ball),
            Play::Over => self.score.over < i32::MAX,
        }
    }

    /// The innings can take the whole passage of play, each part of it in
    /// the state that the parts before it leave.
    pub open spec fn can_play_all(self, plays: Seq<Play>) -> bool
        decreases plays.len(),
    {
        if plays.len() == 0 {
            true
        } else {
            &&& self.can_play_all(plays.drop_last())
            &&& self.after_plays(plays.drop_last()).can_play(plays.last())
        }
    }
}

/// Play in two passages, one after the other, is play in one.
pub proof fn play_in_passages(innings: InningsView, earlier: Seq<Play>, later: Seq<Play>)
    ensures
        innings.after_plays(earlier + later) == innings.after_plays(earlier).after_plays(later),
        innings.can_play_all(earlier + later) <==> innings.can_play_all(earlier)
            && innings.after_plays(earlier).can_play_all(later),
    decreases later.len(),
{
    if later.len() == 0 {
        assert(earlier + later =~= earlier);
    } else {
        assert((earlier + later).drop_last() =~= earlier + later.drop_last());
        play_in_passages(innings, earlier, later.drop_last());
    }
}

/// A passage of play begins with its first part.
pub proof fn play_begins(innings: InningsView, plays: Seq<Play>)
    requires
        plays.len() > 0,
    ensures
        innings.after_plays(plays) == innings.after_play(plays[0]).after_plays(plays.skip(1)),
        innings.can_play_all(plays) <==> innings.can_play(plays[0]) && innings.after_play(
            plays[0],
        ).can_play_all(plays.skip(1)),
{
    let head = seq![plays[0]];
    assert(head + plays.skip(1) =~= plays);
    play_in_passages(innings, head, plays.skip(1));
    assert(head.drop_last() =~= Seq::<Play>::empty());
    assert(innings.after_plays(head.drop_last()) == innings);
    assert(innings.can_play_all(head.drop_last()));
    assert(head.last() == plays[0]);
}

/// The score of an innings is the score of its passage of play.
pub proof fn score_follows_play(innings: InningsView, plays: Seq<Play>)
    ensures
        innings.after_plays(plays).score == innings.score.after_plays(plays),
    decreases plays.len(),
{
    if plays.len() > 0 {
        score_follows_play(innings, plays.drop_last());
    }
}

/// At every point of an innings that began with ten wickets in hand, the
/// wickets lost and the wickets left make ten, and the total is the runs off
/// the bat, the byes, the leg byes, the wides, the no-balls and the penalty
/// runs so far.
pub proof fn innings_tally_holds(batting_team: TeamView, bowling_team: TeamView, plays: Seq<Play>)
    ensures
        ({
            let score = InningsView::start(batting_team, bowling_team).after_plays(plays).score;
            &&& score.wickets_left + score.wickets_lost == 10
            &&& score.runs == bat_runs_in(plays) + score.byes + score.leg_byes + score.wides
                + score.no_balls + penalty_runs_in(plays)
        }),
{
    score_follows_play(InningsView::start(batting_team, bowling_team), plays);
    wickets_make_ten(plays);
    runs_add_up(plays);
}

/// A wide is not a ball of the over and no batter has faced it, and the same
/// holds of a no-ball.
pub proof fn wide_or_no_ball_is_not_faced(innings: InningsView, ball: BallView)
    requires
        innings.knows_batters(ball),
        ball.wide is Some || ball.no_ball is Some,
    ensures
        innings.after_ball(ball).score.ball == innings.score.ball,
        innings.after_ball(ball).batting_team.players.len()
            == innings.batting_team.players.len(),
        forall|i: int|
            0 <= i < innings.batting_team.players.len() ==> (
            #[trigger] innings.after_ball(ball).batting_team.players[i]).balls_faced
                == innings.batting_team.players[i].balls_faced,
{
    let crease = innings.crease_after_runs(ball);
    first_is_first(named(innings.batting_team.players, ball.on_strike.name));
    dismissals_keep_roster(crease, ball.dismissals());
    assert forall|i: int| 0 <= i < innings.batting_team.players.len() implies (
    #[trigger] innings.after_ball(ball).batting_team.players[i]).balls_faced
        == innings.batting_team.players[i].balls_faced by {
        assert(differs_by_dismissal(
            crease.players[i],
            crease.after_dismissals(ball.dismissals()).players[i],
        ));
    }
}

/// The bowler of a delivery concedes every run that the delivery adds to the
/// total of the innings, and no other bowler concedes any.
pub proof fn bowler_concedes_the_total(innings: InningsView, ball: BallView)
    requires
        innings.knows_bowler(ball),
    ensures
        0 <= innings.bowler(ball) < innings.bowling_team.players.len(),
        innings.after_ball(ball).bowling_team.players.len()
            == innings.bowling_team.players.len(),
        innings.after_ball(ball).bowling_team.players[innings.bowler(ball)].runs_conceded
            - innings.bowling_team.players[innings.bowler(ball)].runs_conceded
            == innings.after_ball(ball).score.runs - innings.score.runs,
        forall|i: int|
            0 <= i < innings.bowling_team.players.len() && i != innings.bowler(ball) ==> (
            #[trigger] innings.after_ball(ball).bowling_team.players[i])
                == innings.bowling_team.players[i],
{
    first_is_first(named(innings.bowling_team.players, ball.bowler.name));
}

/// On a delivery without a wicket, an odd number of runs off the bat leaves
/// the batters at the ends opposite to those they took it at, and an even
/// number, zero too, leaves them where they were, whatever the extras. Where
/// the innings had the two batters of the delivery at their ends, odd runs
/// exchange its two positions and even runs keep them.
pub proof fn odd_runs_change_ends(innings: InningsView, ball: BallView)
    requires
        innings.knows_batters(ball),
        ball.dismissals().len() == 0,
    ensures
        ball.runs % 2 != 0 ==> {
            &&& innings.after_ball(ball).on_strike == innings.non_striker(ball)
            &&& innings.after_ball(ball).off_strike == innings.striker(ball)
        },
        ball.runs % 2 == 0 ==> {
            &&& innings.after_ball(ball).on_strike == innings.striker(ball)
            &&& innings.after_ball(ball).off_strike == innings.non_striker(ball)
        },
        innings.on_strike == innings.striker(ball) && innings.off_strike == innings.non_striker(
            ball,
        ) ==> {
            &&& ball.runs % 2 != 0 ==> {
                &&& innings.after_ball(ball).on_strike == innings.off_strike
                &&& innings.after_ball(ball).off_strike == innings.on_strike
            }
            &&& ball.runs % 2 == 0 ==> {
                &&& innings.after_ball(ball).on_strike == innings.on_strike
                &&& innings.after_ball(ball).off_strike == innings.off_strike
            }
        },
{
}

/// The call of "over" exchanges the batters' ends and starts the count of
/// balls afresh, whatever the ball before it brought.
pub proof fn over_changes_ends(innings: InningsView, ball: BallView)
    ensures
        innings.after_over().on_strike == innings.off_strike,
        innings.after_over().off_strike == innings.on_strike,
        innings.after_over().score.ball == 0,
        innings.after_ball(ball).after_over().on_strike == innings.after_ball(ball).off_strike,
        innings.after_ball(ball).after_over().off_strike == innings.after_ball(ball).on_strike,
        innings.after_ball(ball).after_over().score.ball == 0,
{
}

/// The lines of the first `n` players of `players` that have been in, each
/// with the rates that stand at the player's position and closed by a line break.
pub open spec fn batters_text(
    players: Seq<PlayerView>,
    strike_rates: Seq<Seq<char>>,
    economy_rates: Seq<Seq<char>>,
    n: nat,
) -> Seq<char>
    decreases n,
{
    if n == 0 {
        Seq::empty()
    } else {
        batters_text(players, strike_rates, economy_rates, (n - 1) as nat) + if players[n - 1].out
            || players[n - 1].balls_faced != 0 {
            players[n - 1].summary(strike_rates[n - 1], economy_rates[n - 1]) + "\n"@
        } else {
            Seq::empty()
        }
    }
}

/// The values of a list of texts, in order.
pub open spec fn text_views(texts: Seq<String>) -> Seq<Seq<char>> {
    Seq::new(texts.len(), |i: int| texts[i]@)
}

impl InningsView {
    /// The scorecard: the summary of the score, then a line for each batter
    /// who has been in.
    pub open spec fn summary(
        self,
        strike_rates: Seq<Seq<char>>,
        economy_rates: Seq<Seq<char>>,
    ) -> Seq<char> {
        self.score.summary() + "\n"@ + batters_text(
            self.batting_team.players,
            strike_rates,
            economy_rates,
            self.batting_team.players.len(),
        )
    }
}

/// One side's turn at batting.
#[derive(Debug)]
pub struct Innings {
    pub score: CurrentScore,
    pub batting_team: Team,
    pub bowling_team: Team,
    pub on_strike: usize,
    pub off_strike: usize,
    pub finished: bool,
}

impl View for Innings {
    type V = InningsView;

    open spec fn view(&self) -> InningsView {
        InningsView {
            score: self.score@,
            batting_team: self.batting_team@,
            bowling_team: self.bowling_team@,
            on_strike: self.on_strike as int,
            off_strike: self.off_strike as int,
            finished: self.finished,
        }
    }
}

impl Clone for Innings {
    fn clone(&self) -> (copy: Innings)
        ensures
            copy@ == self@,
    {
        Innings {
            score: self.score.clone(),
            batting_team: self.batting_team.clone(),
            bowling_team: self.bowling_team.clone(),
            on_strike: self.on_strike,
            off_strike: self.off_strike,
            finished: self.finished,
        }
    }
}

fn credit_striker(striker: &mut Player, ball: &BallOutcome)
    requires
        old(striker)@.after_facing(ball@).fits(),
    ensures
        final(striker)@ == old(striker)@.after_facing(ball@),
{
    if ball.wide.is_none() && ball.no_ball.is_none() {
        striker.balls_faced = (striker.balls_faced as i64 + 1) as i32;
        if ball.byes.is_none() && ball.leg_byes.is_none() {
            striker.runs = (striker.runs as i64 + ball.runs as i64) as i32;
            if ball.four {
                striker.fours = (striker.fours as i64 + 1) as i32;
            }
            if ball.six {
                striker.sixes = (striker.sixes as i64 + 1) as i32;
            }
        }
    }
}

fn charge_bowler(bowler: &mut Player, ball: &BallOutcome)
    requires
        old(bowler)@.after_bowling(ball@).fits(),
    ensures
        final(bowler)@ == old(bowler)@.after_bowling(ball@),
{
    if ball.wide.is_none() && ball.no_ball.is_none() {
        bowler.balls_bowled = (bowler.balls_bowled as i64 + 1) as i32;
    }
    bowler.runs_conceded = (bowler.runs_conceded as i64 + ball.total_runs()) as i32;
    if let Some(wickets) = &ball.wicket {
        bowler.wickets_taken = (bowler.wickets_taken as i128 + wickets.len() as i128) as i32;
    }
    if ball.wide.is_some() {
        bowler.wides = (bowler.wides as i64 + 1) as i32;
    }
    if ball.no_ball.is_some() {
        bowler.no_balls = (bowler.no_balls as i64 + 1) as i32;
    }
}

fn can_credit_striker(striker: &Player, ball: &BallOutcome) -> (ok: bool)
    ensures
        ok == striker@.after_facing(ball@).fits(),
{
    if ball.wide.is_some() || ball.no_ball.is_some() {
        true
    } else if ball.byes.is_some() || ball.leg_byes.is_some() {
        striker.balls_faced < i32::MAX
    } else {
        striker.balls_faced < i32::MAX && within_i32(striker.runs as i128 + ball.runs as i128)
            && (!ball.four || striker.fours < i32::MAX) && (!ball.six || striker.sixes
            < i32::MAX)
    }
}

fn can_charge_bowler(bowler: &Player, ball: &BallOutcome) -> (ok: bool)
    ensures
        ok == bowler@.after_bowling(ball@).fits(),
{
    let legal = ball.wide.is_none() && ball.no_ball.is_none();
    let wickets: usize = match &ball.wicket {
        Some(wickets) => wickets.len(),
        None => 0,
    };
    (!legal || bowler.balls_bowled < i32::MAX) && within_i32(
        bowler.runs_conceded as i128 + ball.total_runs() as i128,
    ) && within_i32(bowler.wickets_taken as i128 + wickets as i128) && (ball.wide.is_none()
        || bowler.wides < i32::MAX) && (ball.no_ball.is_none() || bowler.no_balls < i32::MAX)
}

impl Innings {
    /// Whether the innings can take `ball_outcome`: its batters and its
    /// bowler are known, no figure leaves its `i32`, and no crease position
    /// its `usize`.
    pub fn can_record(&self, ball_outcome: &BallOutcome) -> (ok: bool)
        ensures
            ok == self@.can_record(ball_outcome@),
    {
        let ghost ball = ball_outcome@;
        let ghost batters = self@.batting_team.players;
        let striker = match self.batting_team.get_player_index(
            ball_outcome.on_strike.name.as_str(),
        ) {
            Some(striker) => striker,
            None => {
                return false;
            },
        };
        let non_striker = match self.batting_team.get_player_index(
            ball_outcome.off_strike.name.as_str(),
        ) {
            Some(non_striker) => non_striker,
            None => {
                return false;
            },
        };
        let mut dismissals: usize = 0;
        if let Some(wickets) = &ball_outcome.wicket {
            dismissals = wickets.len();
            let mut k: usize = 0;
            while k < wickets.len()
                invariant
                    k <= wickets.len(),
                    ball == ball_outcome@,
                    batters == self@.batting_team.players,
                    ball.dismissals() == wicket_views(wickets@),
                    forall|j: int|
                        0 <= j < k ==> position_named_in(
                            batters,
                            (#[trigger] ball.dismissals()[j]).player_out,
                        ) is Some,
                decreases wickets.len() - k,
            {
                if self.batting_team.get_player_index_within(
                    wickets[k].player_out.as_str(),
                ).is_none() {
                    assert(position_named_in(batters, ball.dismissals()[k as int].player_out)
                        is None);
                    return false;
                }
                k += 1;
            }
        }
        proof {
            first_is_first(named(batters, ball.on_strike.name));
            first_is_first(named(batters, ball.off_strike.name));
        }
        if !self.score.can_record(ball_outcome) || !can_credit_striker(
            &self.batting_team.players[striker],
            ball_outcome,
        ) {
            return false;
        }
        let bowler = match self.bowling_team.get_player_index(
            ball_outcome.bowler.name.as_str(),
        ) {
            Some(bowler) => bowler,
            None => {
                return false;
            },
        };
        proof {
            first_is_first(named(self@.bowling_team.players, ball.bowler.name));
        }
        if !can_charge_bowler(&self.bowling_team.players[bowler], ball_outcome) {
            return false;
        }
        striker < usize::MAX - dismissals && non_striker < usize::MAX - dismissals
    }

    /// An innings about to begin, with the first two of the batting roster at the crease.
    pub fn new(batting_team: Team, bowling_team: Team) -> (innings: Innings)
        ensures
            innings@ == InningsView::start(batting_team@, bowling_team@),
    {
        Innings {
            score: CurrentScore::new(),
            batting_team,
            bowling_team,
            on_strike: 0,
            off_strike: 1,
            finished: false,
        }
    }

    /// The scorecard: the summary of the score, then a line for each batter
    /// who has been in. `strike_rates` and `economy_rates` hold, for each
    /// player of the batting roster, the text to show for that rate.
    pub fn summary(&self, strike_rates: &Vec<String>, economy_rates: &Vec<String>) -> (text: String)
        requires
            strike_rates.len() == self.batting_team.players.len(),
            economy_rates.len() == self.batting_team.players.len(),
        ensures
            text@ == self@.summary(text_views(strike_rates@), text_views(economy_rates@)),
    {
        let ghost players = self@.batting_team.players;
        let ghost strikes = text_views(strike_rates@);
        let ghost economies = text_views(economy_rates@);
        let mut text = self.score.summary();
        text.append("\n");
        let ghost head = text@;
        let mut i: usize = 0;
        while i < self.batting_team.players.len()
            invariant
                i <= self.batting_team.players.len(),
                strike_rates.len() == self.batting_team.players.len(),
                economy_rates.len() == self.batting_team.players.len(),
                players == self@.batting_team.players,
                strikes == text_views(strike_rates@),
                economies == text_views(economy_rates@),
                text@ == head + batters_text(players, strikes, economies, i as nat),
            decreases self.batting_team.players.len() - i,
        {
            let batter = &self.batting_team.players[i];
            let ghost lines = batters_text(players, strikes, economies, i as nat);
            if batter.out || batter.balls_faced != 0 {
                let line = batter.summary(strike_rates[i].as_str(), economy_rates[i].as_str());
                assert(line@ == players[i as int].summary(strikes[i as int], economies[i as int]));
                text.append(line.as_str());
                text.append("\n");
                assert(text@ =~= head + (lines + (line@ + "\n"@)));
            } else {
                assert(text@ =~= head + (lines + Seq::<char>::empty()));
            }
            i += 1;
        }
        text
    }

    /// Ends the over: the batters change ends, whatever the last ball brought.
    pub fn over(&mut self)
        requires
            old(self).score.over < i32::MAX,
        ensures
            final(self)@ == old(self)@.after_over(),
            final(self).on_strike == old(self).off_strike,
            final(self).off_strike == old(self).on_strike,
            final(self).score.ball == 0,
    {
        self.score.over();
        let on_strike = self.on_strike;
        self.on_strike = self.off_strike;
        self.off_strike = on_strike;
    }

    /// Records one delivery: the score, the striker's and the bowler's
    /// figures, the ends the batters stand at, and who is out.
    ///
    /// The batters are those that the delivery names, wherever this innings
    /// had them standing before. The delivery must name batters of the
    /// batting roster and a bowler of the bowling roster.
    pub fn score_ball(&mut self, ball_outcome: &BallOutcome)
        requires
            old(self)@.can_record(ball_outcome@),
        ensures
            final(self)@ == old(self)@.after_ball(ball_outcome@),
    {
        let ghost before = old(self)@;
        let ghost ball = ball_outcome@;
        self.score.score_ball(ball_outcome);

        let striker_index = self.batting_team.get_player_index(
            ball_outcome.on_strike.name.as_str(),
        ).unwrap();
        let non_striker_index = self.batting_team.get_player_index(
            ball_outcome.off_strike.name.as_str(),
        ).unwrap();
        proof {
            first_is_first(named(before.batting_team.players, ball.on_strike.name));
            first_is_first(named(before.batting_team.players, ball.off_strike.name));
        }
        let ghost batters = self.batting_team.players@;
        credit_striker(&mut self.batting_team.players[striker_index], ball_outcome);
        proof {
            one_player_changed(batters, self.batting_team.players@, striker_index as int);
        }

        let bowler_index = self.bowling_team.get_player_index(
            ball_outcome.bowler.name.as_str(),
        ).unwrap();
        proof {
            first_is_first(named(before.bowling_team.players, ball.bowler.name));
        }
        let ghost bowlers = self.bowling_team.players@;
        charge_bowler(&mut self.bowling_team.players[bowler_index], ball_outcome);
        proof {
            one_player_changed(bowlers, self.bowling_team.players@, bowler_index as int);
        }

        if ball_outcome.runs % 2 != 0 {
            self.on_strike = non_striker_index;
            self.off_strike = striker_index;
        } else {
            self.on_strike = striker_index;
            self.off_strike = non_striker_index;
        }
        let ghost crease = before.crease_after_runs(ball);
        assert(crease.players == self.batting_team@.players);

        if let Some(wickets) = &ball_outcome.wicket {
            let ghost dismissals = wicket_views(wickets@);
            let mut k: usize = 0;
            while k < wickets.len()
                invariant
                    k <= wickets.len(),
                    dismissals == wicket_views(wickets@),
                    dismissals == ball.dismissals(),
                    before.knows_batters(ball),
                    crease.players == before.crease_after_runs(ball).players,
                    crease.players.len() == before.batting_team.players.len(),
                    forall|text: Seq<char>|
                        #[trigger] named_in(crease.players, text) == named_in(
                            before.batting_team.players,
                            text,
                        ),
                    crease.next_in() + dismissals.len() <= usize::MAX,
                    self@.crease() == crease.after_dismissals(dismissals.take(k as int)),
                    self.batting_team.name == old(self).batting_team.name,
                    self.bowling_team@.players == before.bowlers_after(ball),
                    self.bowling_team@.name == before.bowling_team.name,
                    self.score@ == before.score.after_ball(ball),
                    self.finished == old(self).finished,
                decreases wickets.len() - k,
            {
                let wicket = &wickets[k];
                let ghost now = crease.after_dismissals(dismissals.take(k as int));
                proof {
                    assert(wicket@ == ball.dismissals()[k as int]);
                    assert(dismissals.take(k as int + 1).drop_last() =~= dismissals.take(k as int));
                    dismissals_keep_roster(crease, dismissals.take(k as int));
                    assert(named_in(now.players, wicket@.player_out) == named_in(
                        before.batting_team.players,
                        wicket@.player_out,
                    ));
                    first_is_first(named_in(now.players, wicket@.player_out));
                }
                let out_index = self.batting_team.get_player_index_within(
                    wicket.player_out.as_str(),
                ).unwrap();
                let ghost batters = self.batting_team.players@;
                let out_player = &mut self.batting_team.players[out_index];
                out_player.out = true;
                out_player.dismissal = Some(wicket.kind.clone());
                proof {
                    one_player_changed(batters, self.batting_team.players@, out_index as int);
                }
                let next_in = if self.on_strike >= self.off_strike {
                    self.on_strike + 1
                } else {
                    self.off_strike + 1
                };
                if out_index == self.on_strike {
                    self.on_strike = next_in;
                } else {
                    self.off_strike = next_in;
                }
                k += 1;
            }
            assert(dismissals.take(k as int) =~= dismissals);
        }
    }
}

} // verus!
