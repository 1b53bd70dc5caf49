//! The recorded innings, replayed ball by ball.

use vstd::prelude::*;
use crate::cricsheet::record::{CricsheetInnings, Delivery, Over};
use crate::scoring::ball::BallView;
use crate::scoring::bounds::{fits_i32, within_i32};
use crate::scoring::cricket_match::{Match, MatchView};
use crate::scoring::innings::{Innings, InningsView, play_begins, play_in_passages};
use crate::scoring::player::{Team, TeamView, named, position_named};
use crate::scoring::score::{Play, ScoreView};
use crate::scoring::search::first_is_first;
use crate::scoring::tally::innings_views;
use crate::text::str_eq;

verus! {

impl Delivery {
    /// Whether the delivery can be scored in an innings of `batting` against
    /// `bowling`: its batters and its bowler are in the rosters, and it is
    /// not recorded with byes and leg byes at once.
    pub open spec fn is_playable(&self, batting: TeamView, bowling: TeamView) -> bool {
        &&& position_named(batting.players, self.batter@) is Some
        &&& position_named(batting.players, self.non_striker@) is Some
        &&& position_named(bowling.players, self.bowler@) is Some
        &&& !(self.byes() is Some && self.leg_byes() is Some)
    }

    /// The delivery as scored in an innings of `batting` against `bowling`:
    /// the batters and the bowler are the players of those names as the
    /// rosters have them.
    pub open spec fn ball(&self, batting: TeamView, bowling: TeamView) -> BallView {
        self.outcome(
            batting.players[position_named(batting.players, self.batter@)->0],
            batting.players[position_named(batting.players, self.non_striker@)->0],
            bowling.players[position_named(bowling.players, self.bowler@)->0],
        )
    }
}

/// The deliveries of an over as play.
pub open spec fn balls_of(deliveries: Seq<Delivery>, batting: TeamView, bowling: TeamView) -> Seq<
    Play,
> {
    Seq::new(deliveries.len(), |j: int| Play::Ball(deliveries[j].ball(batting, bowling)))
}

/// The play of the overs from the one at position `i` on: the deliveries of
/// each over, and the call of "over" after them.
pub open spec fn plays_from(overs: Seq<Over>, i: int, batting: TeamView, bowling: TeamView) -> Seq<
    Play,
>
    decreases overs.len() - i,
{
    if i < 0 || i >= overs.len() {
        Seq::empty()
    } else {
        balls_of(overs[i].deliveries@, batting, bowling).push(Play::Over) + plays_from(
            overs,
            i + 1,
            batting,
            bowling,
        )
    }
}

/// Every delivery of every over can be scored.
pub open spec fn all_playable(overs: Seq<Over>, batting: TeamView, bowling: TeamView) -> bool {
    forall|i: int, j: int|
        0 <= i < overs.len() && 0 <= j < overs[i].deliveries@.len() ==> (
        #[trigger] overs[i].deliveries@[j]).is_playable(batting, bowling)
}

/// The states that an innings passes through after each delivery of a
/// passage of play.
pub open spec fn states_after(innings: InningsView, plays: Seq<Play>) -> Seq<InningsView>
    decreases plays.len(),
{
    if plays.len() == 0 {
        Seq::empty()
    } else {
        match plays.last() {
            Play::Ball(_) => states_after(innings, plays.drop_last()).push(
                innings.after_plays(plays),
            ),
            Play::Over => states_after(innings, plays.drop_last()),
        }
    }
}

/// The states of two passages of play, one after the other, are those of the
/// first and then those of the second.
pub proof fn states_in_passages(innings: InningsView, earlier: Seq<Play>, later: Seq<Play>)
    ensures
        states_after(innings, earlier + later) == states_after(innings, earlier) + states_after(
            innings.after_plays(earlier),
            later,
        ),
    decreases later.len(),
{
    if later.len() == 0 {
        assert(earlier + later =~= earlier);
        assert(states_after(innings, earlier) + Seq::<InningsView>::empty() =~= states_after(
            innings,
            earlier,
        ));
    } else {
        assert((earlier + later).drop_last() =~= earlier + later.drop_last());
        states_in_passages(innings, earlier, later.drop_last());
        play_in_passages(innings, earlier, later);
        let before = states_after(innings, earlier);
        let inner = states_after(innings.after_plays(earlier), later.drop_last());
        match later.last() {
            Play::Ball(_) => {
                assert((before + inner).push(innings.after_plays(earlier + later)) =~= before
                    + inner.push(innings.after_plays(earlier).after_plays(later)));
            },
            Play::Over => {},
        }
    }
}

proof fn states_begin(innings: InningsView, plays: Seq<Play>)
    requires
        plays.len() > 0,
    ensures
        states_after(innings, plays) == match plays[0] {
            Play::Ball(_) => seq![innings.after_play(plays[0])],
            Play::Over => Seq::empty(),
        } + states_after(innings.after_play(plays[0]), plays.skip(1)),
{
    let head = seq![plays[0]];
    assert(head + plays.skip(1) =~= plays);
    states_in_passages(innings, head, plays.skip(1));
    assert(head.drop_last() =~= Seq::<Play>::empty());
    assert(innings.after_plays(head.drop_last()) == innings);
    assert(head.last() == plays[0]);
    assert(states_after(innings, head.drop_last()) =~= Seq::<InningsView>::empty());
    match plays[0] {
        Play::Ball(_) => {
            assert(states_after(innings, head) =~= seq![innings.after_play(plays[0])]);
        },
        Play::Over => {},
    }
}

impl CricsheetInnings {
    /// The recorded overs, none where the innings has no play.
    pub open spec fn rounds(&self) -> Seq<Over> {
        match self.overs {
            Some(overs) => overs@,
            None => Seq::empty(),
        }
    }

    /// The penalty runs that the side has before the first ball.
    pub open spec fn runs_before(&self) -> int {
        match self.penalty_runs {
            Some(penalty) => match penalty.pre {
                Some(runs) => runs as int,
                None => 0,
            },
            None => 0,
        }
    }

    /// The penalty runs that the side is given after the last ball.
    pub open spec fn runs_after(&self) -> int {
        match self.penalty_runs {
            Some(penalty) => match penalty.post {
                Some(runs) => runs as int,
                None => 0,
            },
            None => 0,
        }
    }

    /// The sides of the innings, the batting side first: `team1` bats where
    /// the innings is recorded under its name, and `team2` bats where not.
    pub open spec fn sides(&self, team1: TeamView, team2: TeamView) -> (TeamView, TeamView) {
        if self.team@ == team1.name {
            (team1, team2)
        } else {
            (team2, team1)
        }
    }

    /// The innings before its first ball.
    pub open spec fn opening(&self, batting: TeamView, bowling: TeamView) -> InningsView {
        let start = InningsView::start(batting, bowling);
        InningsView { score: ScoreView { runs: self.runs_before(), ..start.score }, ..start }
    }

    /// The play of the innings.
    pub open spec fn plays(&self, batting: TeamView, bowling: TeamView) -> Seq<Play> {
        plays_from(self.rounds(), 0, batting, bowling)
    }

    /// The innings that `played` becomes when it is closed: finished, with
    /// the penalty runs given after the last ball.
    pub open spec fn closed(&self, played: InningsView) -> InningsView {
        InningsView {
            finished: true,
            score: ScoreView { runs: played.score.runs + self.runs_after(), ..played.score },
            ..played
        }
    }

    /// The innings of `batting` against `bowling`, played through and closed.
    pub open spec fn played(&self, batting: TeamView, bowling: TeamView) -> InningsView {
        self.closed(self.opening(batting, bowling).after_plays(self.plays(batting, bowling)))
    }

    /// Whether the innings of `batting` against `bowling` can be played
    /// through: every delivery names players of the rosters and has not byes
    /// and leg byes at once, every delivery and every over can be taken in
    /// the state that the play before it leaves, and the closing total is
    /// within an `i32`.
    pub open spec fn is_playable(&self, batting: TeamView, bowling: TeamView) -> bool {
        &&& all_playable(self.rounds(), batting, bowling)
        &&& self.opening(batting, bowling).can_play_all(self.plays(batting, bowling))
        &&& fits_i32(
            self.opening(batting, bowling).after_plays(self.plays(batting, bowling)).score.runs
                + self.runs_after(),
        )
    }

    /// The innings as a match between `team1` and `team2` records it.
    pub open spec fn replayed(&self, team1: TeamView, team2: TeamView) -> InningsView {
        self.played(self.sides(team1, team2).0, self.sides(team1, team2).1)
    }

    /// Whether the innings can be replayed in a match between `team1` and `team2`.
    pub open spec fn can_replay(&self, team1: TeamView, team2: TeamView) -> bool {
        self.is_playable(self.sides(team1, team2).0, self.sides(team1, team2).1)
    }

    /// The states of the innings after each of its deliveries; the last of
    /// them is the innings as it is closed.
    pub open spec fn states(&self, team1: TeamView, team2: TeamView) -> Seq<InningsView> {
        let batting = self.sides(team1, team2).0;
        let bowling = self.sides(team1, team2).1;
        let states = states_after(self.opening(batting, bowling), self.plays(batting, bowling));
        if states.len() == 0 {
            states
        } else {
            states.drop_last().push(self.played(batting, bowling))
        }
    }

    fn play_through(&self, batting_team: &Team, bowling_team: &Team, keep_states: bool) -> (played:
        Option<(Innings, Vec<Innings>)>)
        ensures
            match played {
                Some((innings, states)) => {
                    &&& self.is_playable(batting_team@, bowling_team@)
                    &&& innings@ == self.played(batting_team@, bowling_team@)
                    &&& innings_views(states@) == if keep_states {
                        states_after(
                            self.opening(batting_team@, bowling_team@),
                            self.plays(batting_team@, bowling_team@),
                        )
                    } else {
                        Seq::empty()
                    }
                },
                None => !self.is_playable(batting_team@, bowling_team@),
            },
    {
        let ghost batting = batting_team@;
        let ghost bowling = bowling_team@;
        let ghost opening = self.opening(batting, bowling);
        let ghost all = self.plays(batting, bowling);
        let ghost all_states = states_after(opening, all);
        let mut states: Vec<Innings> = Vec::new();
        let mut innings = Innings::new(batting_team.clone(), bowling_team.clone());
        if let Some(penalty) = &self.penalty_runs {
            innings.score.runs = match penalty.pre {
                Some(runs) => runs,
                None => 0,
            };
        }
        let no_overs: Vec<Over> = Vec::new();
        let overs = match &self.overs {
            Some(overs) => overs,
            None => &no_overs,
        };
        assert(innings_views(states@) =~= Seq::empty());
        assert(Seq::<InningsView>::empty() + all_states =~= all_states);
        let mut i: usize = 0;
        while i < overs.len()
            invariant
                i <= overs.len(),
                overs@ == self.rounds(),
                batting == batting_team@,
                bowling == bowling_team@,
                opening == self.opening(batting, bowling),
                all == self.plays(batting, bowling),
                forall|m: int, n: int|
                    0 <= m < i && 0 <= n < overs@[m].deliveries@.len() ==> (
                    #[trigger] overs@[m].deliveries@[n]).is_playable(batting, bowling),
                opening.can_play_all(all) <==> innings@.can_play_all(
                    plays_from(overs@, i as int, batting, bowling),
                ),
                innings@.after_plays(plays_from(overs@, i as int, batting, bowling))
                    == opening.after_plays(all),
                keep_states ==> innings_views(states@) + states_after(
                    innings@,
                    plays_from(overs@, i as int, batting, bowling),
                ) == all_states,
                !keep_states ==> states@.len() == 0,
            decreases overs.len() - i,
        {
            let over = &overs[i];
            let ghost later = plays_from(overs@, i as int + 1, batting, bowling);
            let ghost balls = balls_of(over.deliveries@, batting, bowling);
            let ghost tail = seq![Play::Over] + later;
            assert(balls.skip(0) + tail =~= plays_from(overs@, i as int, batting, bowling));
            let mut j: usize = 0;
            while j < over.deliveries.len()
                invariant
                    j <= over.deliveries.len(),
                    i < overs.len(),
                    over == overs@[i as int],
                    overs@ == self.rounds(),
                    batting == batting_team@,
                    bowling == bowling_team@,
                    opening == self.opening(batting, bowling),
                    all == self.plays(batting, bowling),
                    balls == balls_of(over.deliveries@, batting, bowling),
                    forall|m: int, n: int|
                        0 <= m < i && 0 <= n < overs@[m].deliveries@.len() ==> (
                        #[trigger] overs@[m].deliveries@[n]).is_playable(batting, bowling),
                    forall|n: int|
                        0 <= n < j ==> (#[trigger] over.deliveries@[n]).is_playable(
                            batting,
                            bowling,
                        ),
                    opening.can_play_all(all) <==> innings@.can_play_all(
                        balls.skip(j as int) + tail,
                    ),
                    innings@.after_plays(balls.skip(j as int) + tail) == opening.after_plays(all),
                    keep_states ==> innings_views(states@) + states_after(
                        innings@,
                        balls.skip(j as int) + tail,
                    ) == all_states,
                    !keep_states ==> states@.len() == 0,
                decreases over.deliveries.len() - j,
            {
                let ball = &over.deliveries[j];
                let ghost rest = balls.skip(j as int) + tail;
                proof {
                    assert(rest[0] == balls[j as int]);
                    assert(rest.skip(1) =~= balls.skip(j as int + 1) + tail);
                    play_begins(innings@, rest);
                    states_begin(innings@, rest);
                }
                let names_known = (
                    batting_team.get_player_index(ball.batter.as_str()),
                    batting_team.get_player_index(ball.non_striker.as_str()),
                    bowling_team.get_player_index(ball.bowler.as_str()),
                );
                let (striker_at, non_striker_at, bowler_at) = match names_known {
                    (Some(striker_at), Some(non_striker_at), Some(bowler_at)) => (
                        striker_at,
                        non_striker_at,
                        bowler_at,
                    ),
                    _ => {
                        assert(!ball.is_playable(batting, bowling));
                        return None;
                    },
                };
                if has_byes_and_leg_byes(ball) {
                    assert(!ball.is_playable(batting, bowling));
                    return None;
                }
                proof {
                    first_is_first(named(batting.players, ball.batter@));
                    first_is_first(named(batting.players, ball.non_striker@));
                    first_is_first(named(bowling.players, ball.bowler@));
                }
                let striker = batting_team.players[striker_at].clone();
                let non_striker = batting_team.players[non_striker_at].clone();
                let bowler = bowling_team.players[bowler_at].clone();
                let ball_outcome = ball.parse(striker, non_striker, bowler);
                assert(rest[0] == Play::Ball(ball_outcome@));
                if !innings.can_record(&ball_outcome) {
                    assert(!innings@.can_play(rest[0]));
                    assert(!innings@.can_play_all(rest));
                    return None;
                }
                innings.score_ball(&ball_outcome);
                if keep_states {
                    let ghost before = innings_views(states@);
                    states.push(innings.clone());
                    assert(innings_views(states@) =~= before.push(innings@));
                    assert(before.push(innings@) + states_after(innings@, rest.skip(1)) =~= before
                        + (seq![innings@] + states_after(innings@, rest.skip(1))));
                }
                j += 1;
            }
            proof {
                assert(balls.skip(j as int) + tail =~= tail);
                assert(tail[0] == Play::Over);
                assert(tail.skip(1) =~= later);
                play_begins(innings@, tail);
                states_begin(innings@, tail);
                assert(Seq::<InningsView>::empty() + states_after(
                    innings@.after_play(Play::Over),
                    later,
                ) =~= states_after(innings@.after_play(Play::Over), later));
            }
            if innings.score.over == i32::MAX {
                assert(!innings@.can_play(tail[0]));
                assert(!innings@.can_play_all(tail));
                return None;
            }
            innings.over();
            i += 1;
        }
        innings.finished = true;
        let post = match &self.penalty_runs {
            Some(penalty) => match penalty.post {
                Some(runs) => runs,
                None => 0,
            },
            None => 0,
        };
        if !within_i32(innings.score.runs as i128 + post as i128) {
            return None;
        }
        innings.score.runs = innings.score.runs + post;
        proof {
            assert(innings_views(states@) + Seq::<InningsView>::empty() =~= innings_views(
                states@,
            ));
            if !keep_states {
                assert(innings_views(states@) =~= Seq::empty());
            }
        }
        Some((innings, states))
    }

    /// Whether the innings can be replayed in a match between `team1` and
    /// `team2`.
    pub fn is_replayable(&self, team1: &Team, team2: &Team) -> (ok: bool)
        ensures
            ok == self.can_replay(team1@, team2@),
    {
        if str_eq(self.team.as_str(), team1.name.as_str()) {
            self.play_through(team1, team2, false).is_some()
        } else {
            self.play_through(team2, team1, false).is_some()
        }
    }

    /// Plays the innings through and appends it to those of `cricket_match`.
    ///
    /// The side recorded for the innings bats where it is the first team of
    /// the match by name, and else the second team bats.
    pub fn process_innings(&self, cricket_match: &mut Match)
        requires
            self.can_replay(old(cricket_match)@.team1, old(cricket_match)@.team2),
        ensures
            final(cricket_match)@ == (MatchView {
                innings: old(cricket_match)@.innings.push(
                    self.replayed(old(cricket_match)@.team1, old(cricket_match)@.team2),
                ),
                ..old(cricket_match)@
            }),
    {
        let played = if str_eq(self.team.as_str(), cricket_match.team1.name.as_str()) {
            self.play_through(&cricket_match.team1, &cricket_match.team2, false)
        } else {
            self.play_through(&cricket_match.team2, &cricket_match.team1, false)
        };
        let (innings, _) = played.unwrap();
        cricket_match.add_innings(innings);
    }

    /// Plays the innings through between `team1` and `team2` and returns its
    /// state after each delivery. The last state is the closed innings.
    pub fn process_innings_with_states(&self, team1: Team, team2: Team) -> (states: Vec<Innings>)
        requires
            self.can_replay(team1@, team2@),
        ensures
            innings_views(states@) == self.states(team1@, team2@),
    {
        let played = if str_eq(self.team.as_str(), team1.name.as_str()) {
            self.play_through(&team1, &team2, true)
        } else {
            self.play_through(&team2, &team1, true)
        };
        let (innings, mut states) = played.unwrap();
        let count = states.len();
        if count > 0 {
            let ghost before = innings_views(states@);
            states.set(count - 1, innings);
            assert(innings_views(states@) =~= before.drop_last().push(innings@));
        }
        states
    }
}

fn has_byes_and_leg_byes(ball: &Delivery) -> (both: bool)
    ensures
        both == (ball.byes() is Some && ball.leg_byes() is Some),
{
    match &ball.extras {
        Some(extras) => extras.byes.is_some() && extras.legbyes.is_some(),
        None => false,
    }
}

} // verus!
